pub mod diagnostics;
pub mod err;
pub mod error;
pub mod fifo;
pub mod fmtnum;
pub mod gen;
pub mod ir;
pub mod ir2;
pub mod lexer;
pub mod parser;
pub mod smallvec;
pub mod token;
pub mod tokenized_buffer;
