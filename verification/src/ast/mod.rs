pub mod operator;
