pub mod environment;
pub mod error;
pub mod eval;
pub mod expression;
pub mod growth;
pub mod lexer;
pub mod literal;
pub mod machine;
pub mod operator;
pub mod parser;
pub mod printer;
pub mod scoping;
pub mod semantics;
pub mod text;
pub mod transform;
