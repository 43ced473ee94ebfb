//! A disassembler for the Intel 8086: decodes machine code into an
//! assembler listing, with each step proved against a model of the encoding.

pub mod cursor;
pub mod names;
pub mod instruction;
pub mod text;
pub mod form;
pub mod decode;
pub mod listing;
pub mod laws;
