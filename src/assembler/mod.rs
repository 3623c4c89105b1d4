pub mod parser;
pub mod encoder;
pub mod assembler;
